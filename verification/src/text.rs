//! Decimal digits and the `YYYY-MM-DD` text of a date, as the date fields
//! and error messages show them.

use vstd::prelude::*;

use crate::calendar::CalendarDate;

verus! {

/// The character of the decimal digit `d` (0..=9).
pub open spec fn digit_char(d: int) -> char {
    if d == 0 {
        '0'
    } else if d == 1 {
        '1'
    } else if d == 2 {
        '2'
    } else if d == 3 {
        '3'
    } else if d == 4 {
        '4'
    } else if d == 5 {
        '5'
    } else if d == 6 {
        '6'
    } else if d == 7 {
        '7'
    } else if d == 8 {
        '8'
    } else {
        '9'
    }
}

/// Decimal notation of `n`, without leading zeros.
pub open spec fn decimal(n: nat) -> Seq<char>
    decreases n,
{
    if n < 10 {
        seq![digit_char(n as int)]
    } else {
        decimal(n / 10).push(digit_char((n % 10) as int))
    }
}

/// Decimal notation of `n`, padded with leading zeros to at least `width`
/// characters.
pub open spec fn zero_padded(n: nat, width: nat) -> Seq<char> {
    let d = decimal(n);
    if d.len() >= width {
        d
    } else {
        Seq::new((width - d.len()) as nat, |_i: int| '0') + d
    }
}

/// The year as `%Y` prints it: four digits with leading zeros for the
/// years 0 to 9999, otherwise a sign followed by at least four digits.
pub open spec fn year_text(y: int) -> Seq<char> {
    if 0 <= y <= 9999 {
        zero_padded(y as nat, 4)
    } else if y < 0 {
        seq!['-'] + zero_padded((-y) as nat, 4)
    } else {
        seq!['+'] + zero_padded(y as nat, 4)
    }
}

/// The `YYYY-MM-DD` text of a date.
pub open spec fn date_text(d: CalendarDate) -> Seq<char> {
    year_text(d.year as int) + seq!['-'] + zero_padded(d.month as nat, 2) + seq!['-']
        + zero_padded(d.day as nat, 2)
}

/// The one-character text of the digit `d`.
fn digit_str(d: u64) -> (r: &'static str)
    requires
        d < 10,
    ensures
        r@ == seq![digit_char(d as int)],
{
    proof {
        reveal_strlit("0");
        reveal_strlit("1");
        reveal_strlit("2");
        reveal_strlit("3");
        reveal_strlit("4");
        reveal_strlit("5");
        reveal_strlit("6");
        reveal_strlit("7");
        reveal_strlit("8");
        reveal_strlit("9");
    }
    if d == 0 {
        "0"
    } else if d == 1 {
        "1"
    } else if d == 2 {
        "2"
    } else if d == 3 {
        "3"
    } else if d == 4 {
        "4"
    } else if d == 5 {
        "5"
    } else if d == 6 {
        "6"
    } else if d == 7 {
        "7"
    } else if d == 8 {
        "8"
    } else {
        "9"
    }
}

/// Decimal notation of `n`.
pub fn decimal_string(n: u64) -> (r: String)
    ensures
        r@ == decimal(n as nat),
    decreases n,
{
    if n < 10 {
        String::from_str(digit_str(n))
    } else {
        let mut s = decimal_string(n / 10);
        s.append(digit_str(n % 10));
        s
    }
}

/// Decimal notation of `n` with leading zeros up to `width` characters.
pub fn zero_padded_string(n: u64, width: usize) -> (r: String)
    ensures
        r@ == zero_padded(n as nat, width as nat),
{
    let digits = decimal_string(n);
    let len = digits.as_str().unicode_len();
    if len >= width {
        return digits;
    }
    let mut s = String::new();
    let mut i: usize = 0;
    while i < width - len
        invariant
            i <= width - len,
            s@ == Seq::new(i as nat, |_i: int| '0'),
        decreases width - len - i,
    {
        proof {
            reveal_strlit("0");
        }
        s.append("0");
        i = i + 1;
        assert(s@ =~= Seq::new(i as nat, |_i: int| '0'));
    }
    s.append(digits.as_str());
    s
}

/// The `YYYY-MM-DD` text of `date`, as the date fields show it.
pub fn format_date(date: &CalendarDate) -> (r: String)
    ensures
        r@ == date_text(*date),
{
    let y = date.year;
    let mut s = if 0 <= y && y <= 9999 {
        zero_padded_string(y as u64, 4)
    } else if y < 0 {
        let mut t = String::from_str("-");
        let digits = zero_padded_string((-(y as i64)) as u64, 4);
        t.append(digits.as_str());
        t
    } else {
        let mut t = String::from_str("+");
        let digits = zero_padded_string(y as u64, 4);
        t.append(digits.as_str());
        t
    };
    proof {
        reveal_strlit("-");
        reveal_strlit("+");
    }
    s.append("-");
    let month = zero_padded_string(date.month as u64, 2);
    s.append(month.as_str());
    s.append("-");
    let day = zero_padded_string(date.day as u64, 2);
    s.append(day.as_str());
    s
}

} // verus!
