use chrono::{Datelike, Timelike};
use vstd::prelude::*;

verus! {

/// A wall-clock reading in the local time zone, held as plain calendar fields.
#[derive(Clone, Copy, Debug, PartialEq, Eq)]
pub struct LocalTime {
    pub year: i32,
    pub month: u32,
    pub day: u32,
    pub hour: u32,
    pub minute: u32,
    pub second: u32,
}

impl LocalTime {
    /// Each field lies in the range its calendar meaning gives it.
    pub open spec fn wf(&self) -> bool {
        &&& 1 <= self.month <= 12
        &&& 1 <= self.day <= 31
        &&& self.hour <= 23
        &&& self.minute <= 59
        &&& self.second <= 59
    }
}

/// The decimal digit character for `d`, which is below ten.
pub open spec fn digit_char(d: int) -> char {
    seq!['0', '1', '2', '3', '4', '5', '6', '7', '8', '9'][d]
}

/// The decimal digits of `n`, without leading zeros.
pub open spec fn digits(n: nat) -> Seq<char>
    decreases n,
{
    if n < 10 {
        seq![digit_char(n as int)]
    } else {
        digits(n / 10).push(digit_char((n % 10) as int))
    }
}

/// The decimal digits of `n`, padded with zeros to at least four.
pub open spec fn pad4(n: nat) -> Seq<char> {
    let zeros: Seq<char> = if n < 10 {
        seq!['0', '0', '0']
    } else if n < 100 {
        seq!['0', '0']
    } else if n < 1000 {
        seq!['0']
    } else {
        seq![]
    };
    zeros + digits(n)
}

/// A year as four digits; a year outside `0..=9999` carries its sign.
pub open spec fn year_text(y: int) -> Seq<char> {
    if 0 <= y <= 9999 {
        pad4(y as nat)
    } else if y < 0 {
        seq!['-'] + pad4((-y) as nat)
    } else {
        seq!['+'] + pad4(y as nat)
    }
}

/// Two decimal digits of `n`, which is below a hundred.
pub open spec fn two_digits(n: int) -> Seq<char> {
    seq![digit_char(n / 10), digit_char(n % 10)]
}

/// `t` written as `YYYY-MM-DD HH:MM:SS`.
pub open spec fn stamp_text(t: LocalTime) -> Seq<char> {
    year_text(t.year as int) + seq!['-'] + two_digits(t.month as int) + seq!['-'] + two_digits(
        t.day as int,
    ) + seq![' '] + two_digits(t.hour as int) + seq![':'] + two_digits(t.minute as int) + seq![
        ':',
    ] + two_digits(t.second as int)
}

/// A lowercase hexadecimal digit.
pub open spec fn is_lower_hex(c: char) -> bool {
    ('0' <= c <= '9') || ('a' <= c <= 'f')
}

/// A random (version 4) UUID in its hyphenated 8-4-4-4-12 lowercase form.
pub open spec fn is_uuid_v4_text(u: Seq<char>) -> bool {
    &&& u.len() == 36
    &&& forall|i: int|
        0 <= i < 36 ==> if i == 8 || i == 13 || i == 18 || i == 23 {
            #[trigger] u[i] == '-'
        } else {
            is_lower_hex(u[i])
        }
    &&& u[14] == '4'
    &&& u[19] == '8' || u[19] == '9' || u[19] == 'a' || u[19] == 'b'
}

/// The identifier text made of a timestamp and a UUID.
pub open spec fn id_seq(stamp: Seq<char>, uuid: Seq<char>) -> Seq<char> {
    "timestamp "@ + stamp + " id "@ + uuid
}

/// Relies on `chrono::Local::now` and the `Datelike` / `Timelike` accessors,
/// whose documented ranges are 1 to 12 for the month, 1 to 31 for the day,
/// 0 to 23, 0 to 59 and 0 to 59 for hour, minute and second.
#[verifier::external_body]
fn local_now() -> (t: LocalTime)
    ensures
        t.wf(),
{
    let now = chrono::Local::now();
    LocalTime {
        year: now.year(),
        month: now.month(),
        day: now.day(),
        hour: now.hour(),
        minute: now.minute(),
        second: now.second(),
    }
}

/// Relies on `uuid::Uuid::new_v4` and the `Display` of `Uuid`: a random
/// UUID with version nibble 4 and variant bits `10`, written hyphenated in
/// lowercase hex.
#[verifier::external_body]
fn new_uuid_text() -> (r: String)
    ensures
        is_uuid_v4_text(r@),
{
    uuid::Uuid::new_v4().to_string()
}

/// The one-character text for the digit `d`.
fn digit_str(d: u32) -> (r: &'static str)
    requires
        d < 10,
    ensures
        r@ == seq![digit_char(d as int)],
{
    proof {
        reveal_strlit("0");
        reveal_strlit("1");
        reveal_strlit("2");
        reveal_strlit("3");
        reveal_strlit("4");
        reveal_strlit("5");
        reveal_strlit("6");
        reveal_strlit("7");
        reveal_strlit("8");
        reveal_strlit("9");
    }
    match d {
        0 => "0",
        1 => "1",
        2 => "2",
        3 => "3",
        4 => "4",
        5 => "5",
        6 => "6",
        7 => "7",
        8 => "8",
        _ => "9",
    }
}

fn append_digits(out: &mut String, n: u32)
    ensures
        final(out)@ == old(out)@ + digits(n as nat),
    decreases n,
{
    if n >= 10 {
        append_digits(out, n / 10);
    }
    out.append(digit_str(n % 10));
    assert(out@ =~= old(out)@ + digits(n as nat));
}

fn append_pad4(out: &mut String, n: u32)
    ensures
        final(out)@ == old(out)@ + pad4(n as nat),
{
    proof {
        reveal_strlit("000");
        reveal_strlit("00");
        reveal_strlit("0");
    }
    if n < 10 {
        out.append("000");
    } else if n < 100 {
        out.append("00");
    } else if n < 1000 {
        out.append("0");
    }
    append_digits(out, n);
    assert(out@ =~= old(out)@ + pad4(n as nat));
}

fn append_year(out: &mut String, y: i32)
    ensures
        final(out)@ == old(out)@ + year_text(y as int),
{
    proof {
        reveal_strlit("-");
        reveal_strlit("+");
    }
    if 0 <= y && y <= 9999 {
        append_pad4(out, y as u32);
    } else if y < 0 {
        out.append("-");
        append_pad4(out, (0 - (y as i64)) as u32);
        assert(out@ =~= old(out)@ + year_text(y as int));
    } else {
        out.append("+");
        append_pad4(out, y as u32);
        assert(out@ =~= old(out)@ + year_text(y as int));
    }
}

fn append_two(out: &mut String, n: u32)
    requires
        n < 100,
    ensures
        final(out)@ == old(out)@ + two_digits(n as int),
{
    out.append(digit_str(n / 10));
    out.append(digit_str(n % 10));
    assert(out@ =~= old(out)@ + two_digits(n as int));
}

/// Writes `t` as `YYYY-MM-DD HH:MM:SS`.
pub fn timestamp_text(t: &LocalTime) -> (r: String)
    requires
        t.wf(),
    ensures
        r@ == stamp_text(*t),
{
    proof {
        reveal_strlit("");
        reveal_strlit("-");
        reveal_strlit(" ");
        reveal_strlit(":");
    }
    let mut r = String::from_str("");
    append_year(&mut r, t.year);
    r.append("-");
    append_two(&mut r, t.month);
    r.append("-");
    append_two(&mut r, t.day);
    r.append(" ");
    append_two(&mut r, t.hour);
    r.append(":");
    append_two(&mut r, t.minute);
    r.append(":");
    append_two(&mut r, t.second);
    assert(r@ =~= stamp_text(*t));
    r
}

/// Joins a timestamp and a UUID as `timestamp <stamp> id <uuid>`.
pub fn format_id(stamp: &str, uuid: &str) -> (r: String)
    ensures
        r@ == id_seq(stamp@, uuid@),
{
    let mut r = String::from_str("timestamp ");
    r.append(stamp);
    r.append(" id ");
    r.append(uuid);
    r
}

/// An identifier made of the local time now and a fresh random UUID.
pub fn create_id() -> (r: String)
    ensures
        exists|t: LocalTime, u: Seq<char>|
            t.wf() && is_uuid_v4_text(u) && r@ == #[trigger] id_seq(stamp_text(t), u),
{
    let now = local_now();
    let stamp = timestamp_text(&now);
    let uuid = new_uuid_text();
    let r = format_id(stamp.as_str(), uuid.as_str());
    assert(r@ == id_seq(stamp_text(now), uuid@));
    r
}

} // verus!
