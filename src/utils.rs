use vstd::prelude::*;

verus! {

/// The character of a decimal digit.
pub open spec fn digit_char(d: nat) -> char {
    if d == 0 { '0' }
    else if d == 1 { '1' }
    else if d == 2 { '2' }
    else if d == 3 { '3' }
    else if d == 4 { '4' }
    else if d == 5 { '5' }
    else if d == 6 { '6' }
    else if d == 7 { '7' }
    else if d == 8 { '8' }
    else { '9' }
}

/// Decimal digits of a natural number, most significant first, no leading zeros.
pub open spec fn decimal(n: nat) -> Seq<char>
    decreases n,
{
    if n < 10 {
        seq![digit_char(n)]
    } else {
        decimal(n / 10) + seq![digit_char(n % 10)]
    }
}

/// An integer as `{}` prints it.
pub open spec fn int_text(n: int) -> Seq<char> {
    if n < 0 {
        seq!['-'] + decimal((-n) as nat)
    } else {
        decimal(n as nat)
    }
}

/// An integer as `{:02}` prints it: zero-padded to two characters.
pub open spec fn padded2_text(n: int) -> Seq<char> {
    if 0 <= n < 10 {
        seq!['0'] + decimal(n as nat)
    } else {
        int_text(n)
    }
}

/// Integer division rounding toward zero, as Rust's `/` on signed integers.
pub open spec fn div_trunc(a: int, b: int) -> int
    recommends
        b > 0,
{
    if a >= 0 {
        a / b
    } else {
        -((-a) / b)
    }
}

/// Remainder that goes with `div_trunc`, as Rust's `%` on signed integers.
pub open spec fn rem_trunc(a: int, b: int) -> int
    recommends
        b > 0,
{
    a - b * div_trunc(a, b)
}

/// A duration in milliseconds as `minutes:seconds`, seconds on two digits.
pub open spec fn time_text(ms: int) -> Seq<char> {
    let total = div_trunc(ms, 1000);
    int_text(div_trunc(total, 60)) + seq![':'] + padded2_text(rem_trunc(total, 60))
}

fn digit_str(d: u64) -> (r: &'static str)
    requires
        d < 10,
    ensures
        r@ == seq![digit_char(d as nat)],
{
    proof {
        reveal_strlit("0");
        reveal_strlit("1");
        reveal_strlit("2");
        reveal_strlit("3");
        reveal_strlit("4");
        reveal_strlit("5");
        reveal_strlit("6");
        reveal_strlit("7");
        reveal_strlit("8");
        reveal_strlit("9");
    }
    if d == 0 { "0" }
    else if d == 1 { "1" }
    else if d == 2 { "2" }
    else if d == 3 { "3" }
    else if d == 4 { "4" }
    else if d == 5 { "5" }
    else if d == 6 { "6" }
    else if d == 7 { "7" }
    else if d == 8 { "8" }
    else { "9" }
}

/// Appends the decimal digits of `n`.
pub fn push_decimal(s: &mut String, n: u64)
    ensures
        final(s)@ == old(s)@ + decimal(n as nat),
    decreases n,
{
    if n >= 10 {
        push_decimal(s, n / 10);
    }
    s.append(digit_str(n % 10));
}

/// Appends `-` when `negative` and `n` is not zero, then the digits of `n`.
fn push_signed(s: &mut String, negative: bool, n: u64)
    ensures
        final(s)@ == old(s)@ + int_text(if negative { -(n as int) } else { n as int }),
{
    if negative && n > 0 {
        proof { reveal_strlit("-"); }
        s.append("-");
    }
    push_decimal(s, n);
}

/// Formats a duration given in milliseconds as `m:ss`.
///
/// Whole seconds are kept (toward zero); a negative duration prints its
/// minutes and seconds with a minus sign each, as Rust's `{}` and `{:02}` do.
pub fn format_time(ms: i64) -> (r: String)
    ensures
        r@ == time_text(ms as int),
{
    let negative = ms < 0;
    let magnitude: u64 = if negative { (-(ms as i128)) as u64 } else { ms as u64 };
    let total = magnitude / 1000;
    let minutes = total / 60;
    let seconds = total % 60;
    let mut s = String::new();
    push_signed(&mut s, negative, minutes);
    proof { reveal_strlit(":"); }
    s.append(":");
    if seconds < 10 && !(negative && seconds > 0) {
        proof { reveal_strlit("0"); }
        s.append("0");
    }
    push_signed(&mut s, negative, seconds);
    proof {
        let t = div_trunc(ms as int, 1000);
        if negative {
            assert(t == -(total as int));
            assert(div_trunc(t, 60) == -(minutes as int));
            assert(rem_trunc(t, 60) == -(seconds as int));
        } else {
            assert(t == total as int);
        }
        assert(seconds < 10 ==> decimal(seconds as nat) == seq![digit_char(seconds as nat)]);
    }
    assert(s@ =~= time_text(ms as int));
    s
}

/// Appends an integer as `{}` prints it.
pub fn push_int(s: &mut String, n: i64)
    ensures
        final(s)@ == old(s)@ + int_text(n as int),
{
    let negative = n < 0;
    let magnitude: u64 = if negative { (-(n as i128)) as u64 } else { n as u64 };
    push_signed(s, negative, magnitude);
}

/// Texts joined by a separator.
pub open spec fn joined(parts: Seq<Seq<char>>, sep: Seq<char>) -> Seq<char>
    decreases parts.len(),
{
    if parts.len() == 0 {
        seq![]
    } else if parts.len() == 1 {
        parts[0]
    } else {
        joined(parts.drop_last(), sep) + sep + parts.last()
    }
}

pub open spec fn texts_view(v: Seq<String>) -> Seq<Seq<char>> {
    v.map_values(|s: String| s@)
}

/// Joins texts with a separator between each two.
pub fn join_texts(parts: &Vec<String>, sep: &str) -> (r: String)
    ensures
        r@ == joined(texts_view(parts@), sep@),
{
    let mut s = String::new();
    let mut i: usize = 0;
    while i < parts.len()
        invariant
            i <= parts@.len(),
            s@ == joined(texts_view(parts@.subrange(0, i as int)), sep@),
        decreases parts.len() - i,
    {
        let ghost before = parts@.subrange(0, i as int);
        let ghost after = parts@.subrange(0, i + 1);
        if i > 0 {
            s.append(sep);
        }
        s.append(parts[i].as_str());
        assert(texts_view(after).drop_last() =~= texts_view(before));
        assert(s@ =~= joined(texts_view(after), sep@));
        i = i + 1;
    }
    assert(parts@.subrange(0, parts@.len() as int) =~= parts@);
    s
}

} // verus!
