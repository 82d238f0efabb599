//! Local paths of the mirror: how components are joined, how an hour maps
//! to its directory, and which file names count as data or as the
//! completion marker.
//!
//! Paths are plain strings with `/` as the separator, so that the layout
//! `root/<satellite>/<product>/<year>/<day-of-year>/<hour>` can be stated
//! and proved character by character.

use vstd::prelude::*;
use vstd::string::*;

verus! {

/// The path obtained by pushing `part` onto `base`: an absolute `part`
/// replaces `base`, otherwise a separator is inserted unless `base` is empty
/// or already ends in one.
pub open spec fn joined(base: Seq<char>, part: Seq<char>) -> Seq<char> {
    if part.len() > 0 && part[0] == '/' {
        part
    } else if base.len() == 0 || base.last() == '/' {
        base + part
    } else {
        base + seq!['/'] + part
    }
}

/// The character that writes the decimal digit `d`.
pub open spec fn digit_char(d: int) -> char {
    if d == 0 {
        '0'
    } else if d == 1 {
        '1'
    } else if d == 2 {
        '2'
    } else if d == 3 {
        '3'
    } else if d == 4 {
        '4'
    } else if d == 5 {
        '5'
    } else if d == 6 {
        '6'
    } else if d == 7 {
        '7'
    } else if d == 8 {
        '8'
    } else {
        '9'
    }
}

/// The decimal digits of `n`, most significant first, without padding.
pub open spec fn decimal(n: nat) -> Seq<char>
    decreases n,
{
    if n < 10 {
        seq![digit_char(n as int)]
    } else {
        decimal(n / 10).push(digit_char((n % 10) as int))
    }
}

/// `count` zeros.
pub open spec fn zeros(count: nat) -> Seq<char> {
    Seq::new(count, |i: int| '0')
}

/// The decimal digits of `n`, padded on the left with zeros to at least
/// `width` characters.
pub open spec fn zero_padded(n: nat, width: nat) -> Seq<char> {
    let digits = decimal(n);
    if digits.len() >= width {
        digits
    } else {
        zeros((width - digits.len()) as nat) + digits
    }
}

/// A year written with at least four characters, the sign of a negative
/// year counting as one of them.
pub open spec fn year_text(year: int) -> Seq<char> {
    if year < 0 {
        seq!['-'] + zero_padded((-year) as nat, 3)
    } else {
        zero_padded(year as nat, 4)
    }
}

/// A number written in decimal without padding, with a minus sign where it
/// is negative.
pub open spec fn signed_decimal(value: int) -> Seq<char> {
    if value < 0 {
        seq!['-'] + decimal((-value) as nat)
    } else {
        decimal(value as nat)
    }
}

/// The relative directory `YYYY/DDD/HH` of an hour.
pub open spec fn hour_dir(year: int, ordinal: nat, hour: nat) -> Seq<char> {
    year_text(year) + seq!['/'] + zero_padded(ordinal, 3) + seq!['/'] + zero_padded(hour, 2)
}

/// The directory of the hour bucket of a satellite and product under
/// `root`.
pub open spec fn bucket_dir(
    root: Seq<char>,
    satellite: Seq<char>,
    product: Seq<char>,
    year: int,
    ordinal: nat,
    hour: nat,
) -> Seq<char> {
    joined(joined(joined(root, satellite), product), hour_dir(year, ordinal, hour))
}

/// The name of the completion marker inside a bucket directory.
pub open spec fn marker_name() -> Seq<char> {
    seq!['h', 'o', 'u', 'r', '_', 'c', 'o', 'm', 'p', 'l', 'e', 't', 'e', '.', 't', 'x', 't']
}

/// Whether a file name carries the data-file extension: it ends in `.nc`
/// and has at least one character before that.
pub open spec fn is_data_name(name: Seq<char>) -> bool {
    &&& name.len() > 3
    &&& name[name.len() - 3] == '.'
    &&& name[name.len() - 2] == 'n'
    &&& name[name.len() - 1] == 'c'
}

/// Whether `text` ends with `tail`.
pub open spec fn ends_with(text: Seq<char>, tail: Seq<char>) -> bool {
    text.len() >= tail.len() && text.subrange(text.len() - tail.len(), text.len() as int) == tail
}

/// Whether the last component of `path` is the completion marker.
pub open spec fn names_marker(path: Seq<char>) -> bool {
    &&& ends_with(path, marker_name())
    &&& (path.len() == marker_name().len() || path[path.len() - marker_name().len() - 1] == '/')
}

/// The file name of the completion marker.
pub fn marker_file_name() -> (name: &'static str)
    ensures
        name@ == marker_name(),
{
    proof {
        reveal_strlit("hour_complete.txt");
    }
    let name: &'static str = "hour_complete.txt";
    name
}

/// Pushes `part` onto `base` as a path component.
pub fn join(base: &str, part: &str) -> (path: String)
    ensures
        path@ == joined(base@, part@),
{
    proof {
        reveal_strlit("/");
    }
    let part_len: usize = part.unicode_len();
    if part_len > 0 && part.get_char(0) == '/' {
        return String::from_str(part);
    }
    let base_len: usize = base.unicode_len();
    let mut path: String = String::from_str(base);
    if base_len > 0 && base.get_char(base_len - 1) != '/' {
        path.append("/");
    }
    path.append(part);
    path
}

/// Whether `name` carries the data-file extension.
pub fn is_data_file_name(name: &str) -> (data: bool)
    ensures
        data == is_data_name(name@),
{
    let len: usize = name.unicode_len();
    len > 3 && name.get_char(len - 3) == '.' && name.get_char(len - 2) == 'n' && name.get_char(
        len - 1,
    ) == 'c'
}

/// Whether the last component of `path` is the completion marker.
pub fn is_marker_path(path: &str) -> (marker: bool)
    ensures
        marker == names_marker(path@),
{
    let name: &'static str = marker_file_name();
    let name_len: usize = name.unicode_len();
    let len: usize = path.unicode_len();
    if len < name_len {
        return false;
    }
    let start: usize = len - name_len;
    let mut i: usize = 0;
    while i < name_len
        invariant
            i <= name_len,
            name_len == name@.len(),
            len == path@.len(),
            start + name_len == len,
            name@ == marker_name(),
            forall|j: int| 0 <= j < i ==> path@[start + j] == name@[j],
        decreases name_len - i,
    {
        if path.get_char(start + i) != name.get_char(i) {
            return false;
        }
        i += 1;
    }
    assert(path@.subrange(start as int, len as int) =~= name@);
    start == 0 || path.get_char(start - 1) == '/'
}

/// The character that writes the decimal digit `d`, as a string.
fn digit_text(d: u32) -> (text: &'static str)
    requires
        d < 10,
    ensures
        text@ == seq![digit_char(d as int)],
{
    proof {
        reveal_strlit("0");
        reveal_strlit("1");
        reveal_strlit("2");
        reveal_strlit("3");
        reveal_strlit("4");
        reveal_strlit("5");
        reveal_strlit("6");
        reveal_strlit("7");
        reveal_strlit("8");
        reveal_strlit("9");
    }
    let text: &'static str = if d == 0 {
        "0"
    } else if d == 1 {
        "1"
    } else if d == 2 {
        "2"
    } else if d == 3 {
        "3"
    } else if d == 4 {
        "4"
    } else if d == 5 {
        "5"
    } else if d == 6 {
        "6"
    } else if d == 7 {
        "7"
    } else if d == 8 {
        "8"
    } else {
        "9"
    };
    text
}

/// The digits of `n` from the least significant to the most significant.
fn digits_reversed(n: u32) -> (digits: Vec<u32>)
    ensures
        digits@.len() == decimal(n as nat).len(),
        digits@.len() <= 10,
        forall|i: int|
            0 <= i < digits@.len() ==> digits@[i] < 10 && digit_char(digits@[i] as int) == decimal(
                n as nat,
            )[digits@.len() - 1 - i],
{
    let mut digits: Vec<u32> = Vec::new();
    let mut rest: u32 = n;
    let ghost mut tail: Seq<char> = Seq::empty();
    while rest >= 10
        invariant
            decimal(n as nat) == decimal(rest as nat) + tail,
            tail.len() == digits@.len(),
            forall|i: int|
                0 <= i < digits@.len() ==> digits@[i] < 10 && digit_char(digits@[i] as int)
                    == tail[digits@.len() - 1 - i],
        decreases rest,
    {
        let low: u32 = rest % 10;
        proof {
            // decimal(rest) is decimal(rest / 10) followed by the digit `low`.
            assert(decimal(rest as nat) == decimal((rest / 10) as nat).push(
                digit_char(low as int),
            ));
            tail = seq![digit_char(low as int)] + tail;
        }
        digits.push(low);
        rest = rest / 10;
    }
    proof {
        tail = seq![digit_char(rest as int)] + tail;
        lemma_decimal_len(n as nat);
    }
    digits.push(rest);
    digits
}

/// A number below `2^32` has at most ten decimal digits.
proof fn lemma_decimal_len(n: nat)
    requires
        n < 0x1_0000_0000,
    ensures
        decimal(n).len() <= 10,
{
    reveal_with_fuel(decimal, 11);
}

/// Writes `n` in decimal, padded on the left with zeros to `width`
/// characters.
pub fn zero_pad(n: u32, width: usize) -> (text: String)
    ensures
        text@ == zero_padded(n as nat, width as nat),
{
    let digits: Vec<u32> = digits_reversed(n);
    let count: usize = digits.len();
    let mut text: String = String::new();
    let mut padding: usize = 0;
    while padding + count < width
        invariant
            count == digits@.len(),
            count <= 10,
            padding + count <= width || padding == 0,
            text@ == zeros(padding as nat),
        decreases width - padding,
    {
        proof {
            reveal_strlit("0");
        }
        text.append("0");
        padding += 1;
    }
    let mut left: usize = count;
    while left > 0
        invariant
            left <= count,
            count == digits@.len(),
            count == decimal(n as nat).len(),
            forall|i: int|
                0 <= i < digits@.len() ==> digits@[i] < 10 && digit_char(digits@[i] as int)
                    == decimal(n as nat)[digits@.len() - 1 - i],
            text@ == zeros(padding as nat) + decimal(n as nat).take(count - left),
        decreases left,
    {
        left -= 1;
        text.append(digit_text(digits[left]));
    }
    text
}

/// Writes a year with at least four characters, zero-padded, the sign of a
/// negative year counting as one of them.
pub fn year_string(year: i32) -> (text: String)
    ensures
        text@ == year_text(year as int),
{
    if year < 0 {
        proof {
            reveal_strlit("-");
        }
        let magnitude: u32 = (-(year as i64)) as u32;
        let mut text: String = String::from_str("-");
        let digits: String = zero_pad(magnitude, 3);
        text.append(digits.as_str());
        text
    } else {
        zero_pad(year as u32, 4)
    }
}

/// Writes a number in decimal without padding, with a minus sign where it
/// is negative.
pub fn signed_decimal_string(value: i32) -> (text: String)
    ensures
        text@ == signed_decimal(value as int),
{
    if value < 0 {
        proof {
            reveal_strlit("-");
        }
        let magnitude: u32 = (-(value as i64)) as u32;
        let mut text: String = String::from_str("-");
        let digits: String = zero_pad(magnitude, 0);
        text.append(digits.as_str());
        text
    } else {
        zero_pad(value as u32, 0)
    }
}

/// Writes the relative directory `YYYY/DDD/HH` of an hour.
pub fn hour_directory(year: i32, ordinal: u32, hour: u32) -> (text: String)
    ensures
        text@ == hour_dir(year as int, ordinal as nat, hour as nat),
{
    proof {
        reveal_strlit("/");
    }
    let mut text: String = year_string(year);
    text.append("/");
    let day: String = zero_pad(ordinal, 3);
    text.append(day.as_str());
    text.append("/");
    let hh: String = zero_pad(hour, 2);
    text.append(hh.as_str());
    text
}

/// Writes the directory of the hour bucket of a satellite and product
/// under `root`.
pub fn bucket_directory(
    root: &str,
    satellite: &str,
    product: &str,
    year: i32,
    ordinal: u32,
    hour: u32,
) -> (path: String)
    ensures
        path@ == bucket_dir(
            root@,
            satellite@,
            product@,
            year as int,
            ordinal as nat,
            hour as nat,
        ),
{
    let with_satellite: String = join(root, satellite);
    let with_product: String = join(with_satellite.as_str(), product);
    let hour_part: String = hour_directory(year, ordinal, hour);
    join(with_product.as_str(), hour_part.as_str())
}

} // verus!
