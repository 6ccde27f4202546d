//! Verified decimal rendering of the fixed-point quantities: plain
//! integers, times with two decimal places, threshold power with trailing
//! zeros trimmed, and padded fields for the summary line.

use vstd::prelude::*;
use vstd::string::{StrSliceExecFns, StringExecFns};

use crate::model::MAX_TIME_MILLI;

verus! {

/// The character of one decimal digit.
pub open spec fn digit_char(d: int) -> char {
    if d == 0 {
        '0'
    } else if d == 1 {
        '1'
    } else if d == 2 {
        '2'
    } else if d == 3 {
        '3'
    } else if d == 4 {
        '4'
    } else if d == 5 {
        '5'
    } else if d == 6 {
        '6'
    } else if d == 7 {
        '7'
    } else if d == 8 {
        '8'
    } else {
        '9'
    }
}

/// The decimal representation of `n`, most significant digit first, without
/// leading zeros.
pub open spec fn dec_str(n: nat) -> Seq<char>
    decreases n,
{
    if n < 10 {
        seq![digit_char(n as int)]
    } else {
        dec_str(n / 10) + seq![digit_char((n % 10) as int)]
    }
}

/// `n` space characters.
pub open spec fn spaces(n: nat) -> Seq<char>
    decreases n,
{
    if n == 0 {
        Seq::empty()
    } else {
        spaces((n - 1) as nat) + seq![' ']
    }
}

/// `s` padded with spaces on the right to width `w` (unchanged when it is
/// already at least that wide).
pub open spec fn pad_right(s: Seq<char>, w: nat) -> Seq<char> {
    if s.len() >= w {
        s
    } else {
        s + spaces((w - s.len()) as nat)
    }
}

/// `s` padded with spaces on the left to width `w` (unchanged when it is
/// already at least that wide).
pub open spec fn pad_left(s: Seq<char>, w: nat) -> Seq<char> {
    if s.len() >= w {
        s
    } else {
        spaces((w - s.len()) as nat) + s
    }
}

/// A time in thousandths of a minute rendered as minutes with exactly two
/// decimal places, the hundredths rounded half-up.
pub open spec fn time_str(t_milli: u64) -> Seq<char> {
    let c = (t_milli + 5) / 10;
    dec_str((c / 100) as nat) + seq!['.', digit_char((c / 10) % 10), digit_char(c % 10)]
}

/// A threshold power in thousandths of a watt rendered as watts, with the
/// fractional part omitted when zero and its trailing zeros trimmed.
pub open spec fn ftp_str(f_milli: u64) -> Seq<char> {
    let whole = dec_str((f_milli / 1000) as nat);
    let r = (f_milli % 1000) as int;
    if r == 0 {
        whole
    } else if r % 100 == 0 {
        whole + seq!['.', digit_char(r / 100)]
    } else if r % 10 == 0 {
        whole + seq!['.', digit_char(r / 100), digit_char((r / 10) % 10)]
    } else {
        whole + seq!['.', digit_char(r / 100), digit_char((r / 10) % 10), digit_char(r % 10)]
    }
}

/// The one-character string of one decimal digit.
fn digit_to_str(d: u64) -> (s: &'static str)
    requires
        d < 10,
    ensures
        s@ == seq![digit_char(d as int)],
{
    let s: &'static str = if d == 0 {
        "0"
    } else if d == 1 {
        "1"
    } else if d == 2 {
        "2"
    } else if d == 3 {
        "3"
    } else if d == 4 {
        "4"
    } else if d == 5 {
        "5"
    } else if d == 6 {
        "6"
    } else if d == 7 {
        "7"
    } else if d == 8 {
        "8"
    } else {
        "9"
    };
    proof {
        reveal_strlit("0");
        reveal_strlit("1");
        reveal_strlit("2");
        reveal_strlit("3");
        reveal_strlit("4");
        reveal_strlit("5");
        reveal_strlit("6");
        reveal_strlit("7");
        reveal_strlit("8");
        reveal_strlit("9");
        assert(s@ =~= seq![digit_char(d as int)]);
    }
    s
}

/// Renders `n` in decimal.
pub fn u64_to_string(n: u64) -> (s: String)
    ensures
        s@ == dec_str(n as nat),
    decreases n,
{
    if n < 10 {
        String::from_str(digit_to_str(n))
    } else {
        let mut s = u64_to_string(n / 10);
        s.append(digit_to_str(n % 10));
        s
    }
}

/// Appends `n` spaces to `out`.
fn append_spaces(out: &mut String, n: usize)
    ensures
        final(out)@ == old(out)@ + spaces(n as nat),
{
    let mut i: usize = 0;
    proof {
        reveal_strlit(" ");
        assert(out@ =~= old(out)@ + spaces(0));
    }
    while i < n
        invariant
            i <= n,
            out@ == old(out)@ + spaces(i as nat),
        decreases n - i,
    {
        out.append(" ");
        proof {
            reveal_strlit(" ");
            assert(" "@ =~= seq![' ']);
            assert(out@ =~= old(out)@ + spaces((i + 1) as nat));
        }
        i += 1;
    }
}

/// Appends `s` padded with spaces on the right to width `w`.
pub fn append_padded_right(out: &mut String, s: &str, w: usize)
    ensures
        final(out)@ == old(out)@ + pad_right(s@, w as nat),
{
    let len = s.unicode_len();
    out.append(s);
    if len < w {
        append_spaces(out, w - len);
        assert(out@ =~= old(out)@ + pad_right(s@, w as nat));
    }
}

/// Appends `s` padded with spaces on the left to width `w`.
pub fn append_padded_left(out: &mut String, s: &str, w: usize)
    ensures
        final(out)@ == old(out)@ + pad_left(s@, w as nat),
{
    let len = s.unicode_len();
    if len < w {
        append_spaces(out, w - len);
    }
    out.append(s);
    assert(out@ =~= old(out)@ + pad_left(s@, w as nat));
}

/// Appends the two-decimal rendering of a time in thousandths of a minute.
pub fn append_time(out: &mut String, t_milli: u64)
    requires
        t_milli <= MAX_TIME_MILLI,
    ensures
        final(out)@ == old(out)@ + time_str(t_milli),
{
    let c = (t_milli + 5) / 10;
    let whole = u64_to_string(c / 100);
    out.append(whole.as_str());
    out.append(".");
    out.append(digit_to_str((c / 10) % 10));
    out.append(digit_to_str(c % 10));
    proof {
        reveal_strlit(".");
        assert("."@ =~= seq!['.']);
        assert(out@ =~= old(out)@ + time_str(t_milli));
    }
}

/// Appends the watt rendering of a threshold power in thousandths of a
/// watt.
pub fn append_ftp(out: &mut String, f_milli: u64)
    ensures
        final(out)@ == old(out)@ + ftp_str(f_milli),
{
    let whole = u64_to_string(f_milli / 1000);
    out.append(whole.as_str());
    let r = f_milli % 1000;
    if r == 0 {
        assert(out@ =~= old(out)@ + ftp_str(f_milli));
        return ;
    }
    out.append(".");
    proof {
        reveal_strlit(".");
        assert("."@ =~= seq!['.']);
    }
    out.append(digit_to_str(r / 100));
    if r % 100 == 0 {
        assert(out@ =~= old(out)@ + ftp_str(f_milli));
        return ;
    }
    out.append(digit_to_str((r / 10) % 10));
    if r % 10 == 0 {
        assert(out@ =~= old(out)@ + ftp_str(f_milli));
        return ;
    }
    out.append(digit_to_str(r % 10));
    assert(out@ =~= old(out)@ + ftp_str(f_milli));
}

} // verus!
