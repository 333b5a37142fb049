use vstd::prelude::*;
use vstd::string::StringExecFns;

verus! {

/// A local date and time, to the second.
#[derive(Clone, Copy, Debug, PartialEq, Eq, Structural)]
pub struct Timestamp {
    pub year: i32,
    pub month: u32,
    pub day: u32,
    pub hour: u32,
    pub minute: u32,
    pub second: u32,
}

pub open spec fn digit_char(d: nat) -> char {
    ('0' as int + d) as char
}

/// The decimal digits of `n`, without leading zeros.
pub open spec fn decimal(n: nat) -> Seq<char>
    decreases n,
{
    if n < 10 {
        seq![digit_char(n)]
    } else {
        decimal(n / 10).push(digit_char(n % 10))
    }
}

/// `n` in decimal, padded with zeros on the left to at least `width` digits.
pub open spec fn zero_padded(n: nat, width: nat) -> Seq<char> {
    let d = decimal(n);
    if d.len() < width {
        Seq::new((width - d.len()) as nat, |i: int| '0') + d
    } else {
        d
    }
}

/// A year as four digits; years outside 0..=9999 carry a sign.
pub open spec fn year_text(y: int) -> Seq<char> {
    if 0 <= y <= 9999 {
        zero_padded(y as nat, 4)
    } else if y < 0 {
        seq!['-'] + zero_padded((-y) as nat, 4)
    } else {
        seq!['+'] + zero_padded(y as nat, 4)
    }
}

/// `Screenshot_<YYYY-MM-DD_HH-MM-SS>.png`
pub open spec fn file_name_text(t: Timestamp) -> Seq<char> {
    "Screenshot_"@ + year_text(t.year as int) + "-"@ + zero_padded(t.month as nat, 2) + "-"@
        + zero_padded(t.day as nat, 2) + "_"@ + zero_padded(t.hour as nat, 2) + "-"@
        + zero_padded(t.minute as nat, 2) + "-"@ + zero_padded(t.second as nat, 2) + ".png"@
}

fn digit_str(d: u32) -> (r: &'static str)
    requires
        d < 10,
    ensures
        r@ == seq![digit_char(d as nat)],
{
    proof {
        reveal_strlit("0");
        reveal_strlit("1");
        reveal_strlit("2");
        reveal_strlit("3");
        reveal_strlit("4");
        reveal_strlit("5");
        reveal_strlit("6");
        reveal_strlit("7");
        reveal_strlit("8");
        reveal_strlit("9");
    }
    match d {
        0 => "0",
        1 => "1",
        2 => "2",
        3 => "3",
        4 => "4",
        5 => "5",
        6 => "6",
        7 => "7",
        8 => "8",
        _ => "9",
    }
}

fn append_decimal(s: &mut String, n: u32)
    ensures
        final(s)@ == old(s)@ + decimal(n as nat),
    decreases n,
{
    if n >= 10 {
        append_decimal(s, n / 10);
    }
    s.append(digit_str(n % 10));
    assert(final(s)@ =~= old(s)@ + decimal(n as nat));
}

fn decimal_len(n: u32) -> (r: usize)
    ensures
        r == decimal(n as nat).len(),
    decreases n,
{
    if n < 10 {
        1
    } else {
        let k = decimal_len(n / 10);
        proof {
            lemma_decimal_len_bound((n / 10) as nat);
        }
        k + 1
    }
}

proof fn lemma_decimal_len_bound(n: nat)
    ensures
        1 <= decimal(n).len() <= n + 1,
    decreases n,
{
    if n >= 10 {
        lemma_decimal_len_bound(n / 10);
    }
}

fn append_padded(s: &mut String, n: u32, width: usize)
    ensures
        final(s)@ == old(s)@ + zero_padded(n as nat, width as nat),
{
    let len = decimal_len(n);
    if len < width {
        let mut i: usize = len;
        while i < width
            invariant
                len <= i <= width,
                s@ == old(s)@ + Seq::new((i - len) as nat, |k: int| '0'),
            decreases width - i,
        {
            s.append("0");
            proof {
                reveal_strlit("0");
            }
            i = i + 1;
            assert(s@ =~= old(s)@ + Seq::new((i - len) as nat, |k: int| '0'));
        }
    }
    append_decimal(s, n);
    assert(final(s)@ =~= old(s)@ + zero_padded(n as nat, width as nat));
}

fn append_year(s: &mut String, y: i32)
    ensures
        final(s)@ == old(s)@ + year_text(y as int),
{
    if 0 <= y && y <= 9999 {
        append_padded(s, y as u32, 4);
    } else if y < 0 {
        s.append("-");
        proof {
            reveal_strlit("-");
        }
        let a: u32 = (0i64 - y as i64) as u32;
        append_padded(s, a, 4);
        assert(final(s)@ =~= old(s)@ + year_text(y as int));
    } else {
        s.append("+");
        proof {
            reveal_strlit("+");
        }
        append_padded(s, y as u32, 4);
        assert(final(s)@ =~= old(s)@ + year_text(y as int));
    }
}

/// The file name a screenshot taken at `t` is saved under.
pub fn screenshot_file_name(t: &Timestamp) -> (r: String)
    ensures
        r@ == file_name_text(*t),
{
    let mut s = String::from_str("Screenshot_");
    append_year(&mut s, t.year);
    s.append("-");
    append_padded(&mut s, t.month, 2);
    s.append("-");
    append_padded(&mut s, t.day, 2);
    s.append("_");
    append_padded(&mut s, t.hour, 2);
    s.append("-");
    append_padded(&mut s, t.minute, 2);
    s.append("-");
    append_padded(&mut s, t.second, 2);
    s.append(".png");
    assert(s@ =~= file_name_text(*t));
    s
}

} // verus!
